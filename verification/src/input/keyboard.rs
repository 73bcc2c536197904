//! Keyboard backend: turns the state of each bound key into a frame.

use crate::input::frame::FighterInputFrame;
use crate::input::map::{InputActionState, InputMapAction};
use crate::math::scalar::{i32_fits, FGi32};
use crate::math::vec::{vec2_normalize, vec2_normalize_ok, FGVec2};
use vstd::prelude::*;

verus! {

/// The strength of a key in Q16.16: one while held, zero otherwise.
pub open spec fn key_strength(state: InputActionState) -> int {
    if state == InputActionState::JustPressed || state == InputActionState::Pressed {
        65536
    } else {
        0
    }
}

/// What the bindings `b` add up to: `(x, y, jump, shield, attack)`. Each
/// movement binding adds its sign times the key's strength; each button
/// binding sets its button from its key, the last binding winning.
pub open spec fn keyboard_fold(b: Seq<(InputMapAction, InputActionState)>) -> (int, int, bool, bool, bool)
    decreases b.len(),
{
    if b.len() == 0 {
        (0, 0, false, false, false)
    } else {
        let (x, y, j, s, a) = keyboard_fold(b.drop_last());
        let (action, state) = b.last();
        let k = key_strength(state);
        match action {
            InputMapAction::MovementXDir(sign) => (x + sign * k, y, j, s, a),
            InputMapAction::MovementYDir(sign) => (x, y + sign * k, j, s, a),
            InputMapAction::Jump => (x, y, k != 0, s, a),
            InputMapAction::Shield => (x, y, j, k != 0, a),
            InputMapAction::Attack => (x, y, j, s, k != 0),
        }
    }
}

/// Every product and running sum of the fold fits Q16.16.
pub open spec fn keyboard_fits(b: Seq<(InputMapAction, InputActionState)>) -> bool
    decreases b.len(),
{
    if b.len() == 0 {
        true
    } else {
        let (x, y, j, s, a) = keyboard_fold(b.drop_last());
        let (action, state) = b.last();
        let k = key_strength(state);
        &&& keyboard_fits(b.drop_last())
        &&& match action {
            InputMapAction::MovementXDir(sign) => i32_fits(sign * k) && i32_fits(x + sign * k),
            InputMapAction::MovementYDir(sign) => i32_fits(sign * k) && i32_fits(y + sign * k),
            _ => true,
        }
    }
}

proof fn lemma_fold_fits(b: Seq<(InputMapAction, InputActionState)>)
    requires
        keyboard_fits(b),
    ensures
        i32_fits(keyboard_fold(b).0),
        i32_fits(keyboard_fold(b).1),
    decreases b.len(),
{
    if b.len() > 0 {
        lemma_fold_fits(b.drop_last());
    }
}

proof fn lemma_prefix_fits(b: Seq<(InputMapAction, InputActionState)>, i: int)
    requires
        keyboard_fits(b),
        0 <= i <= b.len(),
    ensures
        keyboard_fits(b.subrange(0, i)),
    decreases b.len() - i,
{
    if i < b.len() {
        lemma_prefix_fits(b, i + 1);
        assert(b.subrange(0, i + 1).drop_last() =~= b.subrange(0, i));
    } else {
        assert(b.subrange(0, i) =~= b);
    }
}

/// The frame that the state of each bound key gives: the movement summed
/// over the bindings and normalised, the buttons set from their keys.
pub fn sample_keyboard(bindings: &Vec<(InputMapAction, InputActionState)>) -> (r: FighterInputFrame)
    requires
        keyboard_fits(bindings@),
        vec2_normalize_ok(
            FGVec2 {
                x: FGi32 { bits: keyboard_fold(bindings@).0 as i32 },
                y: FGi32 { bits: keyboard_fold(bindings@).1 as i32 },
            },
        ),
    ensures
        r.movement == (match vec2_normalize(
            FGVec2 {
                x: FGi32 { bits: keyboard_fold(bindings@).0 as i32 },
                y: FGi32 { bits: keyboard_fold(bindings@).1 as i32 },
            },
        ) {
            Some(n) => n,
            None => FGVec2 { x: FGi32 { bits: 0 }, y: FGi32 { bits: 0 } },
        }),
        r.directional_attack == (FGVec2 { x: FGi32 { bits: 0 }, y: FGi32 { bits: 0 } }),
        r.jump == keyboard_fold(bindings@).2,
        r.shield == keyboard_fold(bindings@).3,
        r.attack == keyboard_fold(bindings@).4,
{
    let mut x: i32 = 0;
    let mut y: i32 = 0;
    let mut jump = false;
    let mut shield = false;
    let mut attack = false;
    let mut i: usize = 0;
    while i < bindings.len()
        invariant
            i <= bindings@.len(),
            keyboard_fits(bindings@),
            (x as int, y as int, jump, shield, attack) == keyboard_fold(bindings@.subrange(0, i as int)),
        decreases bindings@.len() - i,
    {
        proof {
            lemma_prefix_fits(bindings@, i + 1);
            assert(bindings@.subrange(0, i + 1).drop_last() =~= bindings@.subrange(0, i as int));
            assert(bindings@.subrange(0, i + 1).last() == bindings@[i as int]);
        }
        let (action, state) = bindings[i];
        let strength: i32 = if state.is_down() {
            65536
        } else {
            0
        };
        match action {
            InputMapAction::MovementXDir(sign) => {
                x = x + sign * strength;
            },
            InputMapAction::MovementYDir(sign) => {
                y = y + sign * strength;
            },
            InputMapAction::Jump => {
                jump = strength != 0;
            },
            InputMapAction::Shield => {
                shield = strength != 0;
            },
            InputMapAction::Attack => {
                attack = strength != 0;
            },
        }
        i = i + 1;
    }
    proof {
        assert(bindings@.subrange(0, bindings@.len() as int) =~= bindings@);
    }
    let movement = FGVec2::new(FGi32::from_bits(x), FGi32::from_bits(y));
    FighterInputFrame {
        movement: movement.normalize_or_zero(),
        directional_attack: FGVec2::zero().normalize_or_zero(),
        jump,
        shield,
        attack,
    }
}

} // verus!
