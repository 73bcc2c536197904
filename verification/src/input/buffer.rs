//! Per-fighter input state: the current and previous frame, plus the buffered
//! commands (smash inputs and friends) that states query when deciding whether
//! to interrupt.

use crate::game_settings::InputSettingsCommon;
use crate::input::frame::FighterInputFrame;
use crate::math::scalar::{abs_int, q16_signum, FGi32};
use vstd::prelude::*;

verus! {

/// A buffered command.
#[derive(Clone, Copy, PartialEq, Eq, Structural, Debug)]
pub enum FighterCommands {
    Jump,
    Shield,
    Attack,
    SmashMoveLeft,
    SmashMoveRight,
}

/// The kind of attack that the last attack press asked for.
#[derive(Clone, Copy, PartialEq, Eq, Structural, Debug, Hash)]
pub enum FighterAttackCommandType {
    Neutral,
    SmashAttackUp,
    SmashAttackDown,
    SmashAttackLeft,
    SmashAttackRight,
    TiltAttackUp,
    TiltAttackDown,
    TiltAttackLeft,
    TiltAttackRight,
}

/// Frames of life remaining for each buffered command.
#[derive(Clone, Copy, PartialEq, Eq, Structural, Debug, Hash)]
pub struct FighterCommandLifetimes {
    pub smash_move_left: u8,
    pub smash_move_right: u8,
    pub jump: u8,
    pub shield: u8,
    pub attack: u8,
}

pub open spec fn lifetime_of(l: FighterCommandLifetimes, command: FighterCommands) -> u8 {
    match command {
        FighterCommands::SmashMoveLeft => l.smash_move_left,
        FighterCommands::SmashMoveRight => l.smash_move_right,
        FighterCommands::Jump => l.jump,
        FighterCommands::Shield => l.shield,
        FighterCommands::Attack => l.attack,
    }
}

/// `l` with the lifetime of `command` replaced by `v`.
pub open spec fn with_lifetime(
    l: FighterCommandLifetimes,
    command: FighterCommands,
    v: u8,
) -> FighterCommandLifetimes {
    match command {
        FighterCommands::SmashMoveLeft => FighterCommandLifetimes { smash_move_left: v, ..l },
        FighterCommands::SmashMoveRight => FighterCommandLifetimes { smash_move_right: v, ..l },
        FighterCommands::Jump => FighterCommandLifetimes { jump: v, ..l },
        FighterCommands::Shield => FighterCommandLifetimes { shield: v, ..l },
        FighterCommands::Attack => FighterCommandLifetimes { attack: v, ..l },
    }
}

pub open spec fn no_lifetimes() -> FighterCommandLifetimes {
    FighterCommandLifetimes { smash_move_left: 0, smash_move_right: 0, jump: 0, shield: 0, attack: 0 }
}

pub open spec fn sat_sub1(v: u8) -> u8 {
    if v == 0 {
        0
    } else {
        (v - 1) as u8
    }
}

pub open spec fn sat_add1(v: u8) -> u8 {
    if v == 255 {
        255
    } else {
        (v + 1) as u8
    }
}

impl FighterCommandLifetimes {
    /// No command buffered.
    pub fn new() -> (r: FighterCommandLifetimes)
        ensures
            r == no_lifetimes(),
    {
        FighterCommandLifetimes { smash_move_left: 0, smash_move_right: 0, jump: 0, shield: 0, attack: 0 }
    }

    pub fn get(&self, command: FighterCommands) -> (r: u8)
        ensures
            r == lifetime_of(*self, command),
    {
        match command {
            FighterCommands::SmashMoveLeft => self.smash_move_left,
            FighterCommands::SmashMoveRight => self.smash_move_right,
            FighterCommands::Jump => self.jump,
            FighterCommands::Shield => self.shield,
            FighterCommands::Attack => self.attack,
        }
    }

    pub fn set(&mut self, command: FighterCommands, v: u8)
        ensures
            *final(self) == with_lifetime(*old(self), command, v),
    {
        match command {
            FighterCommands::SmashMoveLeft => self.smash_move_left = v,
            FighterCommands::SmashMoveRight => self.smash_move_right = v,
            FighterCommands::Jump => self.jump = v,
            FighterCommands::Shield => self.shield = v,
            FighterCommands::Attack => self.attack = v,
        }
    }
}

/// Per-fighter input state.
#[derive(Clone, Copy, PartialEq, Eq, Structural, Debug)]
pub struct FighterInput {
    pub command_lifetimes: FighterCommandLifetimes,
    pub prev_frame: FighterInputFrame,
    pub current_frame: FighterInputFrame,
    pub frames_in_x_flick_deadzone: u8,
    pub frames_in_y_flick_deadzone: u8,
    pub attack_command: FighterAttackCommandType,
}

/// The count of frames an axis has been out of the reset deadzone, toward
/// the same side: reset to `0xFE` inside the deadzone, restarted at one when
/// the axis leaves the deadzone or flips side, otherwise counted up.
pub open spec fn flick_counter(old: u8, prev: int, cur: int, reset: int) -> u8 {
    if abs_int(cur) < reset {
        0xFE
    } else if abs_int(prev) < reset || q16_signum(prev) != q16_signum(cur) {
        1
    } else {
        sat_add1(old)
    }
}

/// The attack a fresh attack press asks for: a smash toward a flicked axis,
/// otherwise a tilt toward the dominant axis, otherwise neutral.
pub open spec fn classify_attack(
    x: int,
    y: int,
    x_flick: bool,
    y_flick: bool,
) -> FighterAttackCommandType {
    if y_flick {
        if y > 0 {
            FighterAttackCommandType::SmashAttackUp
        } else {
            FighterAttackCommandType::SmashAttackDown
        }
    } else if x_flick {
        if x > 0 {
            FighterAttackCommandType::SmashAttackRight
        } else {
            FighterAttackCommandType::SmashAttackLeft
        }
    } else if abs_int(x) > abs_int(y) {
        if x > 0 {
            FighterAttackCommandType::TiltAttackRight
        } else {
            FighterAttackCommandType::TiltAttackLeft
        }
    } else if abs_int(y) > abs_int(x) {
        if y > 0 {
            FighterAttackCommandType::TiltAttackUp
        } else {
            FighterAttackCommandType::TiltAttackDown
        }
    } else {
        FighterAttackCommandType::Neutral
    }
}

/// `postprocess_input` can compute the absolute values it needs.
pub open spec fn postprocess_ok(old: FighterInput, frame: FighterInputFrame, s: InputSettingsCommon) -> bool {
    let reset = s.smash_input_reset_axis_threshold.bits as int;
    &&& frame.movement.x.bits != i32::MIN
    &&& frame.movement.y.bits != i32::MIN
    &&& abs_int(frame.movement.x.bits as int) >= reset ==> old.current_frame.movement.x.bits
        != i32::MIN
    &&& abs_int(frame.movement.y.bits as int) >= reset ==> old.current_frame.movement.y.bits
        != i32::MIN
}

/// The input state after a new frame arrives: lifetimes tick down, fresh
/// presses of jump, shield and attack are buffered for `input_buffer_size`
/// frames, a smash of the horizontal axis buffers a smash move toward its
/// side (clearing the other side), and a fresh attack press records which
/// attack it asks for (where both axes were flicked, the larger one wins).
pub open spec fn postprocess_spec(
    old: FighterInput,
    frame: FighterInputFrame,
    s: InputSettingsCommon,
) -> FighterInput {
    let prev = old.current_frame;
    let reset = s.smash_input_reset_axis_threshold.bits as int;
    let axis = s.smash_input_axis_threshold.bits as int;
    let ft = s.smash_input_frame_threshold;
    let buf = s.input_buffer_size;
    let x = frame.movement.x.bits as int;
    let y = frame.movement.y.bits as int;
    let fx = flick_counter(old.frames_in_x_flick_deadzone, prev.movement.x.bits as int, x, reset);
    let fy = flick_counter(old.frames_in_y_flick_deadzone, prev.movement.y.bits as int, y, reset);
    let x_raw = abs_int(x) >= axis && fx <= ft;
    let y_raw = abs_int(y) >= axis && fy <= ft;
    let x_flick = if x_raw && y_raw {
        abs_int(x) > abs_int(y)
    } else {
        x_raw
    };
    let y_flick = if x_raw && y_raw {
        !(abs_int(x) > abs_int(y))
    } else {
        y_raw
    };
    let attack_edge = frame.attack && !prev.attack;
    let l = old.command_lifetimes;
    FighterInput {
        command_lifetimes: FighterCommandLifetimes {
            jump: if frame.jump && !prev.jump {
                buf
            } else {
                sat_sub1(l.jump)
            },
            shield: if frame.shield && !prev.shield {
                buf
            } else {
                sat_sub1(l.shield)
            },
            attack: if attack_edge {
                buf
            } else {
                sat_sub1(l.attack)
            },
            smash_move_left: if x_raw {
                if x > 0 {
                    0
                } else {
                    buf
                }
            } else {
                sat_sub1(l.smash_move_left)
            },
            smash_move_right: if x_raw {
                if x > 0 {
                    buf
                } else {
                    0
                }
            } else {
                sat_sub1(l.smash_move_right)
            },
        },
        prev_frame: prev,
        current_frame: frame,
        frames_in_x_flick_deadzone: fx,
        frames_in_y_flick_deadzone: fy,
        attack_command: if attack_edge {
            classify_attack(x, y, x_flick, y_flick)
        } else {
            old.attack_command
        },
    }
}

fn flick_counter_exec(old: u8, prev: FGi32, cur: FGi32, reset: FGi32) -> (r: u8)
    requires
        cur.bits != i32::MIN,
        abs_int(cur.bits as int) >= reset.bits ==> prev.bits != i32::MIN,
    ensures
        r == flick_counter(old, prev.bits as int, cur.bits as int, reset.bits as int),
{
    let abs = cur.abs();
    if abs.bits < reset.bits {
        0xFE
    } else {
        let prev_abs = prev.abs();
        if prev_abs.bits < reset.bits || prev.signum().bits != cur.signum().bits {
            1
        } else {
            old.saturating_add(1)
        }
    }
}

/// The input of a fighter before any frame: nothing buffered, sticks
/// centred, no button held.
pub open spec fn is_fresh_input(i: FighterInput) -> bool {
    &&& i.command_lifetimes == no_lifetimes()
    &&& i.prev_frame == i.current_frame
    &&& i.current_frame.movement.x.bits == 0
    &&& i.current_frame.movement.y.bits == 0
    &&& i.current_frame.directional_attack.x.bits == 0
    &&& i.current_frame.directional_attack.y.bits == 0
    &&& !i.current_frame.jump && !i.current_frame.shield && !i.current_frame.attack
    &&& i.frames_in_x_flick_deadzone == 0
    &&& i.frames_in_y_flick_deadzone == 0
    &&& i.attack_command == FighterAttackCommandType::Neutral
}

impl FighterInput {
    /// The state before any frame: nothing buffered, sticks centred.
    pub fn new() -> (r: FighterInput)
        ensures
            is_fresh_input(r),
    {
        FighterInput {
            command_lifetimes: FighterCommandLifetimes::new(),
            prev_frame: FighterInputFrame::neutral(),
            current_frame: FighterInputFrame::neutral(),
            frames_in_x_flick_deadzone: 0,
            frames_in_y_flick_deadzone: 0,
            attack_command: FighterAttackCommandType::Neutral,
        }
    }

    pub fn get_last_frame(&self) -> (r: FighterInputFrame)
        ensures
            r == self.current_frame,
    {
        self.current_frame
    }

    /// Makes `frame` the current frame and the current one the previous.
    pub fn push_input_frame(&mut self, frame: FighterInputFrame)
        ensures
            *final(self) == (FighterInput {
                prev_frame: old(self).current_frame,
                current_frame: frame,
                ..*old(self)
            }),
    {
        self.prev_frame = self.current_frame;
        self.current_frame = frame;
    }

    /// Forgets every buffered command.
    pub fn clear_buffer(&mut self)
        ensures
            *final(self) == (FighterInput { command_lifetimes: no_lifetimes(), ..*old(self) }),
    {
        self.command_lifetimes = FighterCommandLifetimes::new();
    }

    pub fn clear_command(&mut self, command: FighterCommands)
        ensures
            *final(self) == (FighterInput {
                command_lifetimes: with_lifetime(old(self).command_lifetimes, command, 0),
                ..*old(self)
            }),
    {
        self.command_lifetimes.set(command, 0);
    }

    pub fn set_lifetime(&mut self, command: FighterCommands, lifetime: u8)
        ensures
            *final(self) == (FighterInput {
                command_lifetimes: with_lifetime(old(self).command_lifetimes, command, lifetime),
                ..*old(self)
            }),
    {
        self.command_lifetimes.set(command, lifetime);
    }

    /// Whether `command` is still buffered.
    pub fn has_command(&self, command: FighterCommands) -> (r: bool)
        ensures
            r == (lifetime_of(self.command_lifetimes, command) > 0),
    {
        self.command_lifetimes.get(command) > 0
    }

    /// One frame of life less for `command`, never below zero.
    pub fn reduce_command_lifetime(&mut self, command: FighterCommands)
        ensures
            *final(self) == (FighterInput {
                command_lifetimes: with_lifetime(
                    old(self).command_lifetimes,
                    command,
                    sat_sub1(lifetime_of(old(self).command_lifetimes, command)),
                ),
                ..*old(self)
            }),
    {
        let v = self.command_lifetimes.get(command);
        self.command_lifetimes.set(command, v.saturating_sub(1));
    }

    pub fn get_frames_in_smash_move_deadzone(&self) -> (r: u8)
        ensures
            r == self.frames_in_x_flick_deadzone,
    {
        self.frames_in_x_flick_deadzone
    }

    pub fn set_attack_command_type(&mut self, command: FighterAttackCommandType)
        ensures
            *final(self) == (FighterInput { attack_command: command, ..*old(self) }),
    {
        self.attack_command = command;
    }

    pub fn get_attack_command_type(&self) -> (r: FighterAttackCommandType)
        ensures
            r == self.attack_command,
    {
        self.attack_command
    }
}

/// Feeds one new frame of rolled-back input into a fighter's input state.
pub fn postprocess_input(
    input: &mut FighterInput,
    frame: FighterInputFrame,
    settings: &InputSettingsCommon,
)
    requires
        postprocess_ok(*old(input), frame, *settings),
    ensures
        *final(input) == postprocess_spec(*old(input), frame, *settings),
{
    input.reduce_command_lifetime(FighterCommands::Jump);
    input.reduce_command_lifetime(FighterCommands::Shield);
    input.reduce_command_lifetime(FighterCommands::Attack);
    input.reduce_command_lifetime(FighterCommands::SmashMoveLeft);
    input.reduce_command_lifetime(FighterCommands::SmashMoveRight);

    input.push_input_frame(frame);

    let x_abs = input.current_frame.movement.x.abs();
    let y_abs = input.current_frame.movement.y.abs();

    let reset_deadzone = settings.smash_input_reset_axis_threshold;
    let axis_threshold = settings.smash_input_axis_threshold;
    let frame_threshold = settings.smash_input_frame_threshold;
    let buffer_size = settings.input_buffer_size;

    input.frames_in_x_flick_deadzone = flick_counter_exec(
        input.frames_in_x_flick_deadzone,
        input.prev_frame.movement.x,
        input.current_frame.movement.x,
        reset_deadzone,
    );
    input.frames_in_y_flick_deadzone = flick_counter_exec(
        input.frames_in_y_flick_deadzone,
        input.prev_frame.movement.y,
        input.current_frame.movement.y,
        reset_deadzone,
    );

    if !input.prev_frame.jump && input.current_frame.jump {
        input.set_lifetime(FighterCommands::Jump, buffer_size);
    }
    if !input.prev_frame.shield && input.current_frame.shield {
        input.set_lifetime(FighterCommands::Shield, buffer_size);
    }
    if !input.prev_frame.attack && input.current_frame.attack {
        input.set_lifetime(FighterCommands::Attack, buffer_size);
    }

    if x_abs.bits >= axis_threshold.bits && input.frames_in_x_flick_deadzone <= frame_threshold {
        input.clear_command(FighterCommands::SmashMoveLeft);
        input.clear_command(FighterCommands::SmashMoveRight);
        let command_to_set = if input.current_frame.movement.x.bits > 0 {
            FighterCommands::SmashMoveRight
        } else {
            FighterCommands::SmashMoveLeft
        };
        input.set_lifetime(command_to_set, buffer_size);
    }

    let mut y_flick_detected = y_abs.bits >= axis_threshold.bits
        && input.frames_in_y_flick_deadzone <= frame_threshold;
    let mut x_flick_detected = x_abs.bits >= axis_threshold.bits
        && input.frames_in_x_flick_deadzone <= frame_threshold;

    // if both flicks are detected, only one wins
    if x_flick_detected && y_flick_detected {
        x_flick_detected = x_abs.bits > y_abs.bits;
        y_flick_detected = !x_flick_detected;
    }

    let attack_detected = input.current_frame.attack && !input.prev_frame.attack;

    if attack_detected {
        let x = input.current_frame.movement.x;
        let y = input.current_frame.movement.y;
        let attack_type = if y_flick_detected {
            if y.bits > 0 {
                FighterAttackCommandType::SmashAttackUp
            } else {
                FighterAttackCommandType::SmashAttackDown
            }
        } else if x_flick_detected {
            if x.bits > 0 {
                FighterAttackCommandType::SmashAttackRight
            } else {
                FighterAttackCommandType::SmashAttackLeft
            }
        } else if x_abs.bits > y_abs.bits {
            if x.is_positive() {
                FighterAttackCommandType::TiltAttackRight
            } else {
                FighterAttackCommandType::TiltAttackLeft
            }
        } else if y_abs.bits > x_abs.bits {
            if y.is_positive() {
                FighterAttackCommandType::TiltAttackUp
            } else {
                FighterAttackCommandType::TiltAttackDown
            }
        } else {
            FighterAttackCommandType::Neutral
        };
        input.set_lifetime(FighterCommands::Attack, buffer_size);
        input.set_attack_command_type(attack_type);
    }

    if x_flick_detected {
        input.clear_command(FighterCommands::SmashMoveLeft);
        input.clear_command(FighterCommands::SmashMoveRight);
        let command_to_set = if input.current_frame.movement.x.bits > 0 {
            FighterCommands::SmashMoveRight
        } else {
            FighterCommands::SmashMoveLeft
        };
        input.set_lifetime(command_to_set, buffer_size);
    }
}


/// Clearing a command forgets it and leaves the other commands as they
/// were.
pub proof fn clear_command_forgets(l: FighterCommandLifetimes, command: FighterCommands, other: FighterCommands)
    ensures
        lifetime_of(with_lifetime(l, command, 0), command) == 0,
        other != command ==> lifetime_of(with_lifetime(l, command, 0), other) == lifetime_of(l, other),
{
}

/// At most one smash direction is buffered.
pub open spec fn smash_exclusive(l: FighterCommandLifetimes) -> bool {
    l.smash_move_left == 0 || l.smash_move_right == 0
}

/// No command is buffered for longer than the buffer size.
pub open spec fn lifetimes_within(l: FighterCommandLifetimes, size: u8) -> bool {
    &&& l.jump <= size
    &&& l.shield <= size
    &&& l.attack <= size
    &&& l.smash_move_left <= size
    &&& l.smash_move_right <= size
}

/// A new frame keeps the buffer consistent: at most one smash direction
/// stays buffered, no command outlives the buffer size, and the frame
/// before becomes the previous frame.
pub proof fn postprocess_keeps_buffer_consistent(before: FighterInput, frame: FighterInputFrame, s: InputSettingsCommon)
    requires
        smash_exclusive(before.command_lifetimes),
        lifetimes_within(before.command_lifetimes, s.input_buffer_size),
    ensures
        smash_exclusive(postprocess_spec(before, frame, s).command_lifetimes),
        lifetimes_within(postprocess_spec(before, frame, s).command_lifetimes, s.input_buffer_size),
        postprocess_spec(before, frame, s).prev_frame == before.current_frame,
        postprocess_spec(before, frame, s).current_frame == frame,
{
}

/// A fresh attack press with the stick short of the smash threshold on both
/// axes asks for a tilt along the axis the stick leans on more, toward the
/// side it points; with neither axis leaning more, a neutral attack.
pub proof fn tilts_follow_the_dominant_axis(before: FighterInput, frame: FighterInputFrame, s: InputSettingsCommon)
    requires
        frame.attack,
        !before.current_frame.attack,
        abs_int(frame.movement.x.bits as int) < s.smash_input_axis_threshold.bits,
        abs_int(frame.movement.y.bits as int) < s.smash_input_axis_threshold.bits,
    ensures
        abs_int(frame.movement.y.bits as int) > abs_int(frame.movement.x.bits as int) && frame.movement.y.bits > 0
            ==> postprocess_spec(before, frame, s).attack_command == FighterAttackCommandType::TiltAttackUp,
        abs_int(frame.movement.y.bits as int) > abs_int(frame.movement.x.bits as int) && frame.movement.y.bits < 0
            ==> postprocess_spec(before, frame, s).attack_command == FighterAttackCommandType::TiltAttackDown,
        abs_int(frame.movement.x.bits as int) > abs_int(frame.movement.y.bits as int) && frame.movement.x.bits > 0
            ==> postprocess_spec(before, frame, s).attack_command == FighterAttackCommandType::TiltAttackRight,
        abs_int(frame.movement.x.bits as int) > abs_int(frame.movement.y.bits as int) && frame.movement.x.bits < 0
            ==> postprocess_spec(before, frame, s).attack_command == FighterAttackCommandType::TiltAttackLeft,
        abs_int(frame.movement.x.bits as int) == abs_int(frame.movement.y.bits as int)
            ==> postprocess_spec(before, frame, s).attack_command == FighterAttackCommandType::Neutral,
{
}

} // verus!
