//! What a physical button means, independent of the device.

use vstd::prelude::*;

verus! {

/// The state of a digital input this frame.
#[derive(Clone, Copy, PartialEq, Eq, Structural, Debug)]
pub enum InputActionState {
    JustPressed,
    Pressed,
    JustReleased,
    Released,
}

/// The gameplay action a binding drives.
#[derive(Clone, Copy, PartialEq, Eq, Structural, Debug)]
pub enum InputMapAction {
    MovementXDir(i32),
    MovementYDir(i32),
    Jump,
    Shield,
    Attack,
}

impl InputActionState {
    /// The state of a key from what the device reports this frame: a fresh
    /// press wins over a release, which wins over a held key.
    pub fn from_key(just_pressed: bool, just_released: bool, pressed: bool) -> (r: InputActionState)
        ensures
            r == (if just_pressed {
                InputActionState::JustPressed
            } else if just_released {
                InputActionState::JustReleased
            } else if pressed {
                InputActionState::Pressed
            } else {
                InputActionState::Released
            }),
    {
        if just_pressed {
            InputActionState::JustPressed
        } else if just_released {
            InputActionState::JustReleased
        } else if pressed {
            InputActionState::Pressed
        } else {
            InputActionState::Released
        }
    }

    /// Whether the action is held this frame.
    pub fn is_down(self) -> (r: bool)
        ensures
            r == (self == InputActionState::JustPressed || self == InputActionState::Pressed),
    {
        match self {
            InputActionState::JustPressed | InputActionState::Pressed => true,
            InputActionState::JustReleased | InputActionState::Released => false,
        }
    }
}


/// The keyboard keys the bindings use.
#[derive(Clone, Copy, PartialEq, Eq, Structural, Debug, Hash)]
pub enum KeyboardKey {
    KeyA,
    KeyD,
    KeyJ,
    KeyS,
    KeyW,
    Space,
    ShiftLeft,
    ArrowUp,
    ArrowDown,
    ArrowLeft,
    ArrowRight,
    Enter,
    Escape,
}

/// The gamepad buttons the bindings use.
#[derive(Clone, Copy, PartialEq, Eq, Structural, Debug, Hash)]
pub enum GamepadButtonId {
    North,
    South,
    East,
    West,
    LeftTrigger,
    RightTrigger,
    DPadUp,
    DPadDown,
    DPadLeft,
    DPadRight,
    Start,
}

/// The gamepad axes the bindings use.
#[derive(Clone, Copy, PartialEq, Eq, Structural, Debug, Hash)]
pub enum GamepadAxisId {
    LeftStickX,
    LeftStickY,
}

/// A gamepad control: a button, or an axis with a sign.
#[derive(Clone, Copy, PartialEq, Eq, Structural, Debug)]
pub enum GamepadBinding {
    Button(GamepadButtonId),
    Axis(GamepadAxisId, i32),
}

#[derive(Clone, Copy, PartialEq, Eq, Structural, Debug)]
pub struct KeyboardInputMapElement {
    pub key: KeyboardKey,
    pub action: InputMapAction,
}

#[derive(Clone, Copy, PartialEq, Eq, Structural, Debug)]
pub struct GamepadInputMapElement {
    pub binding: GamepadBinding,
    pub action: InputMapAction,
}

/// The gameplay bindings.
#[derive(Clone, Debug)]
pub struct BaseInputMap {
    pub keyboard: Vec<KeyboardInputMapElement>,
    pub gamepad: Vec<GamepadInputMapElement>,
}

/// What a menu binding drives.
#[derive(Clone, Copy, PartialEq, Eq, Structural, Debug)]
pub enum MenuInputMapAction {
    MovementXDir(i32),
    MovementYDir(i32),
    Accept,
    Back,
    Start,
}

#[derive(Clone, Copy, PartialEq, Eq, Structural, Debug)]
pub struct MenuKeyboardInputMapElement {
    pub key: KeyboardKey,
    pub action: MenuInputMapAction,
}

#[derive(Clone, Copy, PartialEq, Eq, Structural, Debug)]
pub struct MenuGamepadInputMapElement {
    pub binding: GamepadBinding,
    pub action: MenuInputMapAction,
}

/// The menu bindings.
#[derive(Clone, Debug)]
pub struct MenuInputMap {
    pub keyboard: Vec<MenuKeyboardInputMapElement>,
    pub gamepad: Vec<MenuGamepadInputMapElement>,
}

pub open spec fn key_binding(key: KeyboardKey, action: InputMapAction) -> KeyboardInputMapElement {
    KeyboardInputMapElement { key, action }
}

pub open spec fn pad_binding(binding: GamepadBinding, action: InputMapAction) -> GamepadInputMapElement {
    GamepadInputMapElement { binding, action }
}

/// The default gameplay keys: WASD to move, Space to jump, left Shift to
/// shield, J to attack.
pub open spec fn default_keyboard_bindings() -> Seq<KeyboardInputMapElement> {
    seq![
        key_binding(KeyboardKey::KeyD, InputMapAction::MovementXDir(1)),
        key_binding(KeyboardKey::KeyA, InputMapAction::MovementXDir(-1i32)),
        key_binding(KeyboardKey::KeyW, InputMapAction::MovementYDir(1)),
        key_binding(KeyboardKey::KeyS, InputMapAction::MovementYDir(-1i32)),
        key_binding(KeyboardKey::Space, InputMapAction::Jump),
        key_binding(KeyboardKey::ShiftLeft, InputMapAction::Shield),
        key_binding(KeyboardKey::KeyJ, InputMapAction::Attack),
    ]
}

/// The default gameplay gamepad controls: the left stick moves, North
/// jumps, either trigger shields, East attacks.
pub open spec fn default_gamepad_bindings() -> Seq<GamepadInputMapElement> {
    seq![
        pad_binding(GamepadBinding::Axis(GamepadAxisId::LeftStickX, 1), InputMapAction::MovementXDir(1)),
        pad_binding(GamepadBinding::Axis(GamepadAxisId::LeftStickY, 1), InputMapAction::MovementYDir(1)),
        pad_binding(GamepadBinding::Button(GamepadButtonId::North), InputMapAction::Jump),
        pad_binding(GamepadBinding::Button(GamepadButtonId::LeftTrigger), InputMapAction::Shield),
        pad_binding(GamepadBinding::Button(GamepadButtonId::RightTrigger), InputMapAction::Shield),
        pad_binding(GamepadBinding::Button(GamepadButtonId::East), InputMapAction::Attack),
    ]
}

pub open spec fn menu_key(key: KeyboardKey, action: MenuInputMapAction) -> MenuKeyboardInputMapElement {
    MenuKeyboardInputMapElement { key, action }
}

pub open spec fn menu_pad(binding: GamepadBinding, action: MenuInputMapAction) -> MenuGamepadInputMapElement {
    MenuGamepadInputMapElement { binding, action }
}

/// The default menu keys: arrows and WASD to move, Enter to accept, Escape
/// to go back, Space to start.
pub open spec fn default_menu_keyboard_bindings() -> Seq<MenuKeyboardInputMapElement> {
    seq![
        menu_key(KeyboardKey::ArrowUp, MenuInputMapAction::MovementYDir(1)),
        menu_key(KeyboardKey::ArrowDown, MenuInputMapAction::MovementYDir(-1i32)),
        menu_key(KeyboardKey::ArrowLeft, MenuInputMapAction::MovementXDir(-1i32)),
        menu_key(KeyboardKey::ArrowRight, MenuInputMapAction::MovementXDir(1)),
        menu_key(KeyboardKey::Enter, MenuInputMapAction::Accept),
        menu_key(KeyboardKey::Escape, MenuInputMapAction::Back),
        menu_key(KeyboardKey::Space, MenuInputMapAction::Start),
        menu_key(KeyboardKey::KeyW, MenuInputMapAction::MovementYDir(1)),
        menu_key(KeyboardKey::KeyS, MenuInputMapAction::MovementYDir(-1i32)),
        menu_key(KeyboardKey::KeyA, MenuInputMapAction::MovementXDir(-1i32)),
        menu_key(KeyboardKey::KeyD, MenuInputMapAction::MovementXDir(1)),
    ]
}

/// The default menu gamepad controls: the D-pad and left stick move, South
/// accepts, West goes back, Start starts.
pub open spec fn default_menu_gamepad_bindings() -> Seq<MenuGamepadInputMapElement> {
    seq![
        menu_pad(GamepadBinding::Button(GamepadButtonId::DPadUp), MenuInputMapAction::MovementYDir(1)),
        menu_pad(GamepadBinding::Button(GamepadButtonId::DPadDown), MenuInputMapAction::MovementYDir(-1i32)),
        menu_pad(GamepadBinding::Button(GamepadButtonId::DPadLeft), MenuInputMapAction::MovementXDir(-1i32)),
        menu_pad(GamepadBinding::Button(GamepadButtonId::DPadRight), MenuInputMapAction::MovementXDir(1)),
        menu_pad(GamepadBinding::Axis(GamepadAxisId::LeftStickX, 1), MenuInputMapAction::MovementXDir(1)),
        menu_pad(GamepadBinding::Axis(GamepadAxisId::LeftStickY, 1), MenuInputMapAction::MovementYDir(1)),
        menu_pad(GamepadBinding::Button(GamepadButtonId::South), MenuInputMapAction::Accept),
        menu_pad(GamepadBinding::Button(GamepadButtonId::West), MenuInputMapAction::Back),
        menu_pad(GamepadBinding::Button(GamepadButtonId::Start), MenuInputMapAction::Start),
    ]
}

impl BaseInputMap {
    /// The default gameplay bindings.
    pub fn default_bindings() -> (r: BaseInputMap)
        ensures
            r.keyboard@ == default_keyboard_bindings(),
            r.gamepad@ == default_gamepad_bindings(),
    {
        let keyboard = vec![
            KeyboardInputMapElement { key: KeyboardKey::KeyD, action: InputMapAction::MovementXDir(1) },
            KeyboardInputMapElement { key: KeyboardKey::KeyA, action: InputMapAction::MovementXDir(-1) },
            KeyboardInputMapElement { key: KeyboardKey::KeyW, action: InputMapAction::MovementYDir(1) },
            KeyboardInputMapElement { key: KeyboardKey::KeyS, action: InputMapAction::MovementYDir(-1) },
            KeyboardInputMapElement { key: KeyboardKey::Space, action: InputMapAction::Jump },
            KeyboardInputMapElement { key: KeyboardKey::ShiftLeft, action: InputMapAction::Shield },
            KeyboardInputMapElement { key: KeyboardKey::KeyJ, action: InputMapAction::Attack },
        ];
        let gamepad = vec![
            GamepadInputMapElement {
                binding: GamepadBinding::Axis(GamepadAxisId::LeftStickX, 1),
                action: InputMapAction::MovementXDir(1),
            },
            GamepadInputMapElement {
                binding: GamepadBinding::Axis(GamepadAxisId::LeftStickY, 1),
                action: InputMapAction::MovementYDir(1),
            },
            GamepadInputMapElement { binding: GamepadBinding::Button(GamepadButtonId::North), action: InputMapAction::Jump },
            GamepadInputMapElement {
                binding: GamepadBinding::Button(GamepadButtonId::LeftTrigger),
                action: InputMapAction::Shield,
            },
            GamepadInputMapElement {
                binding: GamepadBinding::Button(GamepadButtonId::RightTrigger),
                action: InputMapAction::Shield,
            },
            GamepadInputMapElement { binding: GamepadBinding::Button(GamepadButtonId::East), action: InputMapAction::Attack },
        ];
        assert(keyboard@ =~= default_keyboard_bindings());
        assert(gamepad@ =~= default_gamepad_bindings());
        BaseInputMap { keyboard, gamepad }
    }
}

impl MenuInputMap {
    /// The default menu bindings.
    pub fn default_bindings() -> (r: MenuInputMap)
        ensures
            r.keyboard@ == default_menu_keyboard_bindings(),
            r.gamepad@ == default_menu_gamepad_bindings(),
    {
        let keyboard = vec![
            MenuKeyboardInputMapElement { key: KeyboardKey::ArrowUp, action: MenuInputMapAction::MovementYDir(1) },
            MenuKeyboardInputMapElement { key: KeyboardKey::ArrowDown, action: MenuInputMapAction::MovementYDir(-1) },
            MenuKeyboardInputMapElement { key: KeyboardKey::ArrowLeft, action: MenuInputMapAction::MovementXDir(-1) },
            MenuKeyboardInputMapElement { key: KeyboardKey::ArrowRight, action: MenuInputMapAction::MovementXDir(1) },
            MenuKeyboardInputMapElement { key: KeyboardKey::Enter, action: MenuInputMapAction::Accept },
            MenuKeyboardInputMapElement { key: KeyboardKey::Escape, action: MenuInputMapAction::Back },
            MenuKeyboardInputMapElement { key: KeyboardKey::Space, action: MenuInputMapAction::Start },
            MenuKeyboardInputMapElement { key: KeyboardKey::KeyW, action: MenuInputMapAction::MovementYDir(1) },
            MenuKeyboardInputMapElement { key: KeyboardKey::KeyS, action: MenuInputMapAction::MovementYDir(-1) },
            MenuKeyboardInputMapElement { key: KeyboardKey::KeyA, action: MenuInputMapAction::MovementXDir(-1) },
            MenuKeyboardInputMapElement { key: KeyboardKey::KeyD, action: MenuInputMapAction::MovementXDir(1) },
        ];
        let gamepad = vec![
            MenuGamepadInputMapElement {
                binding: GamepadBinding::Button(GamepadButtonId::DPadUp),
                action: MenuInputMapAction::MovementYDir(1),
            },
            MenuGamepadInputMapElement {
                binding: GamepadBinding::Button(GamepadButtonId::DPadDown),
                action: MenuInputMapAction::MovementYDir(-1),
            },
            MenuGamepadInputMapElement {
                binding: GamepadBinding::Button(GamepadButtonId::DPadLeft),
                action: MenuInputMapAction::MovementXDir(-1),
            },
            MenuGamepadInputMapElement {
                binding: GamepadBinding::Button(GamepadButtonId::DPadRight),
                action: MenuInputMapAction::MovementXDir(1),
            },
            MenuGamepadInputMapElement {
                binding: GamepadBinding::Axis(GamepadAxisId::LeftStickX, 1),
                action: MenuInputMapAction::MovementXDir(1),
            },
            MenuGamepadInputMapElement {
                binding: GamepadBinding::Axis(GamepadAxisId::LeftStickY, 1),
                action: MenuInputMapAction::MovementYDir(1),
            },
            MenuGamepadInputMapElement { binding: GamepadBinding::Button(GamepadButtonId::South), action: MenuInputMapAction::Accept },
            MenuGamepadInputMapElement { binding: GamepadBinding::Button(GamepadButtonId::West), action: MenuInputMapAction::Back },
            MenuGamepadInputMapElement { binding: GamepadBinding::Button(GamepadButtonId::Start), action: MenuInputMapAction::Start },
        ];
        assert(keyboard@ =~= default_menu_keyboard_bindings());
        assert(gamepad@ =~= default_menu_gamepad_bindings());
        MenuInputMap { keyboard, gamepad }
    }
}

} // verus!
