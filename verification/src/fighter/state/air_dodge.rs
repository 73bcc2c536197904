//! Air dodging.

use crate::fighter::animation::AnimKind;
use crate::fighter::motion::FighterVelocity;
use crate::fighter::state::air::apply_air_motion;
use crate::fighter::state::fall::{air_moved, FallState};
use crate::fighter::state::{buffered, with_animation, FighterState, FighterStateContext};
use crate::input::buffer::FighterCommands;
use crate::math::scalar::{i32_fits, q16_mul, FGi32};
use crate::math::vec::{vec2_add_fits, vec2_normalize_ok, vec2_normalize_or_zero, FGVec2};
use vstd::prelude::*;

verus! {

#[derive(Clone, Copy, PartialEq, Eq, Structural, Debug, Hash)]
pub struct AirDodgeState {
    pub duration_counter: u32,
    pub direction: FGVec2,
}

/// A buffered shield press dodges along the stick.
pub open spec fn air_dodge_input(c: &FighterStateContext) -> Option<FighterState> {
    if buffered(c, FighterCommands::Shield) {
        Some(FighterState::AirDodge(AirDodgeState {
            duration_counter: 0,
            direction: vec2_normalize_or_zero(c.input.current_frame.movement),
        }))
    } else {
        None
    }
}

pub open spec fn air_dodge_input_ok(c: &FighterStateContext) -> bool {
    buffered(c, FighterCommands::Shield) ==> vec2_normalize_ok(c.input.current_frame.movement)
}

/// The dodge ends into a fall once it has lasted its duration.
pub open spec fn air_dodge_interrupt(s: AirDodgeState, c: &FighterStateContext) -> Option<FighterState> {
    if s.duration_counter >= c.attributes.air_dodge_duration {
        Some(FighterState::Fall(FallState))
    } else {
        None
    }
}

impl AirDodgeState {
    pub fn check_interrupt(&self, ctx: &FighterStateContext) -> (r: Option<FighterState>)
        ensures
            r == air_dodge_interrupt(*self, ctx),
    {
        if self.duration_counter >= ctx.attributes.air_dodge_duration {
            Some(FighterState::Fall(FallState))
        } else {
            None
        }
    }
}

/// Enters `AirDodge` on a buffered shield press.
pub fn check_input(ctx: &FighterStateContext) -> (r: Option<FighterState>)
    requires
        air_dodge_input_ok(ctx),
    ensures
        r == air_dodge_input(ctx),
{
    if ctx.input.has_command(FighterCommands::Shield) {
        Some(FighterState::AirDodge(AirDodgeState {
            duration_counter: 0,
            direction: ctx.input.get_last_frame().movement.normalize_or_zero(),
        }))
    } else {
        None
    }
}


/// The velocity after one frame of dodge decay.
pub open spec fn dodge_velocity(c: &FighterStateContext) -> FGVec2 {
    let d = c.attributes.air_dodge_decay.bits as int;
    FGVec2 {
        x: FGi32 { bits: q16_mul(c.velocity.0.x.bits as int, d) as i32 },
        y: FGi32 { bits: q16_mul(c.velocity.0.y.bits as int, d) as i32 },
    }
}

pub open spec fn air_dodge_update_ok(s: AirDodgeState, c: &FighterStateContext) -> bool {
    let d = c.attributes.air_dodge_decay.bits as int;
    &&& s.duration_counter < u32::MAX
    &&& i32_fits(q16_mul(c.velocity.0.x.bits as int, d))
    &&& i32_fits(q16_mul(c.velocity.0.y.bits as int, d))
    &&& vec2_add_fits(c.translation.0, dodge_velocity(c))
}

/// The velocity a dodge starts with: its direction at the dodge speed.
pub open spec fn dodge_launch(s: AirDodgeState, c: &FighterStateContext) -> FGVec2 {
    let v = c.attributes.air_dodge_velocity.bits as int;
    FGVec2 {
        x: FGi32 { bits: q16_mul(s.direction.x.bits as int, v) as i32 },
        y: FGi32 { bits: q16_mul(s.direction.y.bits as int, v) as i32 },
    }
}

impl AirDodgeState {
    /// The dodge animation starts and the fighter is launched along the
    /// dodge direction.
    pub fn on_enter(&mut self, ctx: &mut FighterStateContext)
        requires
            i32_fits(q16_mul(old(self).direction.x.bits as int, old(ctx).attributes.air_dodge_velocity.bits as int)),
            i32_fits(q16_mul(old(self).direction.y.bits as int, old(ctx).attributes.air_dodge_velocity.bits as int)),
        ensures
            *final(self) == *old(self),
            *final(ctx) == (FighterStateContext {
                velocity: FighterVelocity(dodge_launch(*old(self), old(ctx))),
                ..with_animation(*old(ctx), AnimKind::AirDodge, false)
            }),
    {
        ctx.play_animation(AnimKind::AirDodge, false);
        ctx.velocity.0 = self.direction.scale(ctx.attributes.air_dodge_velocity);
    }

    /// One more frame of dodge; the velocity decays, then the fighter moves.
    pub fn update(&mut self, ctx: &mut FighterStateContext)
        requires
            air_dodge_update_ok(*old(self), old(ctx)),
        ensures
            *final(self) == (AirDodgeState { duration_counter: (old(self).duration_counter + 1) as u32, ..*old(self) }),
            *final(ctx) == air_moved(*old(ctx), dodge_velocity(old(ctx))),
    {
        self.duration_counter = self.duration_counter + 1;
        ctx.velocity.0 = ctx.velocity.0.scale(ctx.attributes.air_dodge_decay);
        apply_air_motion(&ctx.velocity, &mut ctx.translation, &mut ctx.prev_translation);
    }
}

impl AirDodgeState {
    /// The fighter lands where its path met the stage.
    pub fn check_collision_interrupt(
        &mut self,
        ctx: &mut FighterStateContext,
        contacts: &crate::fighter::collision::StageContacts,
    ) -> (r: Option<FighterState>)
        requires
            crate::fighter::collision::hits_measurable(contacts.ray_hits@, old(ctx).translation.0),
        ensures
            *final(self) == *old(self),
            r == crate::fighter::collision::air_landing(old(ctx), contacts.ray_hits@),
            *final(ctx) == crate::fighter::collision::context_after_landing(*old(ctx), contacts.ray_hits@),
    {
        crate::fighter::collision::airborne_collision_interrupt(ctx, &contacts.ray_hits)
    }
}

} // verus!
