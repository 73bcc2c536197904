//! Everything fighter-shaped: geometry, motion, the input-driven state
//! machine's decisions and animation sampling.

pub mod animation;
pub mod attack;
pub mod attributes;
pub mod baked_animation;
pub mod collision;
pub mod ecb;
pub mod hurtbox;
pub mod manifest;
pub mod motion;
pub mod state;
pub mod visual_bones;

use crate::math::scalar::FGi32;
use crate::math::vec::FGVec2;
use vstd::prelude::*;

verus! {

/// Which way a fighter faces.
#[derive(Clone, Copy, PartialEq, Eq, Structural, Debug, Hash)]
pub enum FighterFacingDirection {
    Left,
    Right,
}

pub open spec fn facing_sign(d: FighterFacingDirection) -> int {
    match d {
        FighterFacingDirection::Left => -65536,
        FighterFacingDirection::Right => 65536,
    }
}

pub open spec fn reversed(d: FighterFacingDirection) -> FighterFacingDirection {
    match d {
        FighterFacingDirection::Left => FighterFacingDirection::Right,
        FighterFacingDirection::Right => FighterFacingDirection::Left,
    }
}

impl FighterFacingDirection {
    /// The opposite direction.
    pub fn reverse(&self) -> (r: FighterFacingDirection)
        ensures
            r == reversed(*self),
    {
        match self {
            FighterFacingDirection::Left => FighterFacingDirection::Right,
            FighterFacingDirection::Right => FighterFacingDirection::Left,
        }
    }

    /// `-1` facing left, `1` facing right.
    pub fn to_sign(&self) -> (r: FGi32)
        ensures
            r.bits == facing_sign(*self),
    {
        match self {
            FighterFacingDirection::Left => FGi32::neg_one(),
            FighterFacingDirection::Right => FGi32::one(),
        }
    }
}

/// How far around a fighter the match camera keeps in view.
#[derive(Clone, Copy, PartialEq, Eq, Structural, Debug)]
pub struct FighterCameraProfile {
    pub vertical_origin_offset: FGi32,
    pub forward_extent: FGi32,
    pub backward_extent: FGi32,
    pub upward_extent: FGi32,
    pub downward_extent: FGi32,
    /// Reserved for future offscreen indicators and close-up camera modes.
    pub visibility_radius: FGi32,
}

impl FighterCameraProfile {
    /// Every extent and the visibility radius are non-negative.
    pub fn is_valid(&self) -> (r: bool)
        ensures
            r == (self.forward_extent.bits >= 0 && self.backward_extent.bits >= 0
                && self.upward_extent.bits >= 0 && self.downward_extent.bits >= 0
                && self.visibility_radius.bits >= 0),
    {
        self.forward_extent.bits >= 0 && self.backward_extent.bits >= 0 && self.upward_extent.bits
            >= 0 && self.downward_extent.bits >= 0 && self.visibility_radius.bits >= 0
    }
}

/// The attack a fighter is performing and which of its hitboxes are active.
#[derive(Clone, Debug)]
pub struct FighterHitboxes {
    pub attack_script: Option<attack::AttackKind>,
    pub active_hitboxes: Vec<usize>,
}

impl FighterHitboxes {
    pub fn new() -> (r: FighterHitboxes)
        ensures
            r.attack_script is None,
            r.active_hitboxes@.len() == 0,
    {
        FighterHitboxes { attack_script: None, active_hitboxes: Vec::new() }
    }

    /// No attack, no active hitbox.
    pub fn clear(&mut self)
        ensures
            final(self).attack_script is None,
            final(self).active_hitboxes@.len() == 0,
    {
        self.attack_script = None;
        self.active_hitboxes.clear();
    }
}


/// The components a fighter enters a match with.
#[derive(Clone, Debug)]
pub struct FighterSpawn {
    pub player_handle: usize,
    pub facing_direction: FighterFacingDirection,
    pub ecb: ecb::FighterECB,
    pub hitboxes: FighterHitboxes,
    pub velocity: motion::FighterVelocity,
    pub translation: motion::FighterTranslation,
    pub prev_translation: motion::FighterPreviousTranslation,
    pub state: state::FighterState,
    pub animation_frame: animation::FighterAnimationFrame,
    pub input: crate::input::buffer::FighterInput,
}

/// A fighter entering a match at `spawn_position`: facing right, at rest,
/// falling, with an ECB 5 tall and 2.5 wide on each side, no attack, no
/// input yet, and the standing animation on a loop.
pub fn spawn_fighter(player_handle: usize, spawn_position: FGVec2) -> (r: FighterSpawn)
    ensures
        r.player_handle == player_handle,
        r.facing_direction == FighterFacingDirection::Right,
        r.ecb.vertical_half.bits == 5 * 65536,
        r.ecb.horizontal_half.bits == 5 * 32768,
        r.hitboxes.attack_script is None,
        r.hitboxes.active_hitboxes@.len() == 0,
        r.velocity.0.x.bits == 0 && r.velocity.0.y.bits == 0,
        r.translation.0 == spawn_position,
        r.prev_translation.0 == spawn_position,
        r.state == state::FighterState::Fall(state::fall::FallState),
        r.animation_frame == (animation::FighterAnimationFrame {
            kind: animation::AnimKind::Wait,
            frame: 0,
            repeat: true,
        }),
        crate::input::buffer::is_fresh_input(r.input),
{
    FighterSpawn {
        player_handle,
        facing_direction: FighterFacingDirection::Right,
        ecb: ecb::FighterECB { vertical_half: FGi32::from_int(5), horizontal_half: FGi32::from_bits(5 * 32768) },
        hitboxes: FighterHitboxes::new(),
        velocity: motion::FighterVelocity(FGVec2::zero()),
        translation: motion::FighterTranslation(spawn_position),
        prev_translation: motion::FighterPreviousTranslation(spawn_position),
        state: state::FighterState::Fall(state::fall::FallState),
        animation_frame: animation::FighterAnimationFrame::new(animation::AnimKind::Wait, true),
        input: crate::input::buffer::FighterInput::new(),
    }
}

/// Turning around twice faces the fighter the way it faced, and turning
/// around flips the sign of its facing.
pub proof fn reverse_twice_restores_facing(d: FighterFacingDirection)
    ensures
        reversed(reversed(d)) == d,
        facing_sign(reversed(d)) == -facing_sign(d),
{
}

} // verus!
