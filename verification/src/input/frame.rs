//! One frame of a player's raw input.

use crate::math::scalar::FGi32;
use crate::math::vec::FGVec2;
use vstd::prelude::*;

verus! {

/// One frame of a player's raw input: the stick, the attack direction and
/// the three buttons. This is what is exchanged between peers each frame.
#[derive(Clone, Copy, PartialEq, Eq, Structural, Debug)]
pub struct FighterInputFrame {
    pub movement: FGVec2,
    pub directional_attack: FGVec2,
    pub jump: bool,
    pub shield: bool,
    pub attack: bool,
}

impl FighterInputFrame {
    /// The neutral frame: sticks centred, nothing pressed.
    pub fn neutral() -> (r: FighterInputFrame)
        ensures
            r.movement.x.bits == 0,
            r.movement.y.bits == 0,
            r.directional_attack.x.bits == 0,
            r.directional_attack.y.bits == 0,
            !r.jump,
            !r.shield,
            !r.attack,
    {
        FighterInputFrame {
            movement: FGVec2::zero(),
            directional_attack: FGVec2::zero(),
            jump: false,
            shield: false,
            attack: false,
        }
    }
}

} // verus!
